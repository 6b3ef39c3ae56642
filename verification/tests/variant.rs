use espyscript::{EnumType, EnumVariant, Storage, Tuple, Value};
use std::rc::Rc;

fn value(storage: Storage<u8>) -> Value<u8> {
    Value { storage }
}

fn sample(index: usize) -> EnumVariant<u8> {
    let definition = Rc::new(EnumType {
        id: 5,
        variants: Tuple::from(vec![
            (Some(Rc::from("A")), value(Storage::I64Type)),
            (None, value(Storage::Any)),
        ]),
    });
    EnumVariant { contents: value(Storage::I64(42)), variant: index, definition }
}

#[test]
fn getters_give_the_parts() {
    let v = sample(0);
    assert!(matches!(v.contents().storage, Storage::I64(42)));
    assert_eq!(v.variant(), 0);
    assert_eq!(v.definition().id, 5);
    assert_eq!(v.definition().variants.len(), 2);
}

#[test]
fn unwrap_gives_the_variant_name_and_the_contents() {
    let (name, contents) = sample(0).unwrap();
    assert_eq!(name.as_deref(), Some("A"));
    assert!(matches!(contents.storage, Storage::I64(42)));
}

#[test]
fn unwrap_of_an_unnamed_variant_has_no_name() {
    let (name, contents) = sample(1).unwrap();
    assert!(name.is_none());
    assert!(matches!(contents.storage, Storage::I64(42)));
}
