//! Type conformance: whether a value satisfies a type.

use crate::value::{Storage, Value, ValueView};
use vstd::prelude::*;

verus! {

/// Whether the value `v` conforms to the type `ty`.
///
/// Everything conforms to `Any`. Of the type-valued forms, `Type`, `Any`,
/// `Unit`, `I64Type` and enum types conform to `Type`. `Unit` conforms to
/// itself, an integer, boolean or string to its marker, and an enum variant to
/// the enum type it was defined by. Nothing else conforms.
pub open spec fn conforms<H>(v: ValueView<H>, ty: ValueView<H>) -> bool {
    match (v, ty) {
        (_, ValueView::Any) => true,
        (
            ValueView::Type
            | ValueView::Any
            | ValueView::Unit
            | ValueView::I64Type
            | ValueView::EnumType(_),
            ValueView::Type,
        ) => true,
        (ValueView::Unit, ValueView::Unit) => true,
        (ValueView::I64(_), ValueView::I64Type) => true,
        (ValueView::Bool(_), ValueView::BoolType) => true,
        (ValueView::String(_), ValueView::StringType) => true,
        (ValueView::EnumVariant(e), ValueView::EnumType(t)) => e.definition.id == t.id,
        _ => false,
    }
}

impl<H> Value<H> {
    /// Whether this value conforms to the type `ty`.
    pub fn type_cmp(&self, ty: &Self) -> (conforming: bool)
        ensures
            conforming == conforms(self@, ty@),
            ty@ is Any ==> conforming,
            self@ is I64 && ty@ is I64Type ==> conforming,
            self@ is Bool && ty@ is BoolType ==> conforming,
            self@ is String && ty@ is StringType ==> conforming,
            self@ is Unit && ty@ is Unit ==> conforming,
    {
        match (&self.storage, &ty.storage) {
            (_, Storage::Any) => true,
            (
                Storage::Type
                | Storage::Any
                | Storage::Unit
                | Storage::I64Type
                | Storage::EnumType(_),
                Storage::Type,
            ) => true,
            (Storage::Unit, Storage::Unit) => true,
            (Storage::I64(_), Storage::I64Type) => true,
            (Storage::Bool(_), Storage::BoolType) => true,
            (Storage::String(_), Storage::StringType) => true,
            (Storage::EnumVariant(variant), Storage::EnumType(ty)) => variant.definition.id == ty.id,
            (_, _) => false,
        }
    }
}

} // verus!
