use espyscript::{
    EnumType, EnumVariant, Error, Function, FunctionAction, Storage, StructType, Tuple, Value,
};
use std::rc::Rc;

type V = Value<u8>;

fn value(storage: Storage<u8>) -> V {
    Value { storage }
}

fn enum_type() -> Rc<EnumType<u8>> {
    Rc::new(EnumType {
        id: 1,
        variants: Tuple::from(vec![(Some(Rc::from("A")), value(Storage::I64Type))]),
    })
}

fn function() -> V {
    value(Storage::Function(Rc::new(Function {
        action: FunctionAction::OptionSome,
        argument: value(Storage::I64(1)),
    })))
}

fn enum_variant() -> V {
    value(Storage::EnumVariant(Rc::new(EnumVariant {
        contents: value(Storage::I64(2)),
        variant: 0,
        definition: enum_type(),
    })))
}

fn struct_type() -> V {
    value(Storage::StructType(Rc::new(StructType { id: 9, inner: value(Storage::Bool(true)) })))
}

#[test]
fn into_tuple_gives_the_tuple() {
    let t = value(Storage::Tuple(Tuple::from(vec![(None, value(Storage::I64(1)))])));
    let t = t.into_tuple().unwrap();
    assert_eq!(t.len(), 1);
    assert!(matches!(t.value(0), Some(Value { storage: Storage::I64(1) })));
}

#[test]
fn into_tuple_refuses_other_values_and_hands_them_back() {
    assert!(matches!(
        value(Storage::I64(3)).into_tuple(),
        Err(Error::ExpectedTuple(Value { storage: Storage::I64(3) }))
    ));
    assert!(matches!(
        value(Storage::Unit).into_tuple(),
        Err(Error::ExpectedTuple(Value { storage: Storage::Unit }))
    ));
}

#[test]
fn into_tuple_or_unit_takes_unit_as_no_tuple() {
    assert!(matches!(value(Storage::Unit).into_tuple_or_unit(), Ok(None)));
}

#[test]
fn into_tuple_or_unit_gives_the_tuple() {
    let t = value(Storage::Tuple(Tuple::from(vec![])));
    assert!(matches!(t.into_tuple_or_unit(), Ok(Some(t)) if t.is_empty()));
}

#[test]
fn into_tuple_or_unit_refuses_other_values() {
    assert!(matches!(
        value(Storage::Bool(true)).into_tuple_or_unit(),
        Err(Error::ExpectedTuple(Value { storage: Storage::Bool(true) }))
    ));
}

#[test]
fn into_function_gives_the_function() {
    let f = function().into_function().unwrap();
    assert!(matches!(f.action, FunctionAction::OptionSome));
    assert!(matches!(f.argument.storage, Storage::I64(1)));
}

#[test]
fn into_function_refuses_other_values() {
    assert!(matches!(
        value(Storage::I64(3)).into_function(),
        Err(Error::ExpectedFunction(Value { storage: Storage::I64(3) }))
    ));
    assert!(matches!(enum_variant().into_function(), Err(Error::ExpectedFunction(_))));
}

#[test]
fn into_enum_variant_gives_the_variant() {
    let v = enum_variant().into_enum_variant().unwrap();
    assert_eq!(v.variant, 0);
    assert!(matches!(v.contents.storage, Storage::I64(2)));
}

#[test]
fn into_enum_variant_refuses_other_values() {
    assert!(matches!(
        value(Storage::OptionNone).into_enum_variant(),
        Err(Error::ExpectedEnumVariant(Value { storage: Storage::OptionNone }))
    ));
}

#[test]
fn into_enum_type_gives_the_type() {
    let t = value(Storage::EnumType(enum_type())).into_enum_type().unwrap();
    assert_eq!(t.id, 1);
    assert_eq!(t.variants.len(), 1);
}

#[test]
fn into_enum_type_refuses_other_values() {
    assert!(matches!(struct_type().into_enum_type(), Err(Error::ExpectedEnumType(_))));
    assert!(matches!(
        value(Storage::Type).into_enum_type(),
        Err(Error::ExpectedEnumType(Value { storage: Storage::Type }))
    ));
}

#[test]
fn into_struct_type_gives_the_type() {
    let t = struct_type().into_struct_type().unwrap();
    assert_eq!(t.id, 9);
    assert!(matches!(t.inner.storage, Storage::Bool(true)));
}

#[test]
fn into_struct_type_refuses_other_values() {
    assert!(matches!(
        value(Storage::EnumType(enum_type())).into_struct_type(),
        Err(Error::ExpectedStructType(_))
    ));
}

#[test]
fn owned_payload_is_taken_from_a_sole_or_a_shared_cell() {
    let sole = Function::try_from(function()).unwrap();
    assert!(matches!(sole.argument.storage, Storage::I64(1)));
    let shared = function();
    let kept = shared.clone();
    let copy = Function::try_from(shared).unwrap();
    assert!(matches!(copy.action, FunctionAction::OptionSome));
    assert!(matches!(copy.argument.storage, Storage::I64(1)));
    assert!(matches!(kept.storage, Storage::Function(_)));
    let variant = EnumVariant::try_from(enum_variant()).unwrap();
    assert_eq!(variant.variant, 0);
    let ty = EnumType::try_from(value(Storage::EnumType(enum_type()))).unwrap();
    assert_eq!(ty.id, 1);
    let st = StructType::try_from(struct_type()).unwrap();
    assert_eq!(st.id, 9);
    assert!(matches!(
        Function::try_from(value(Storage::Unit)),
        Err(Error::ExpectedFunction(Value { storage: Storage::Unit }))
    ));
}

#[test]
fn storage_converts_into_a_value() {
    let v: V = Storage::I64(4).into();
    assert!(matches!(v.storage, Storage::I64(4)));
    assert!(matches!(Storage::<u8>::default(), Storage::Unit));
}
