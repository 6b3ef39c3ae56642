//! Projections: taking the payload out of a value of the expected form.

use crate::error::{Error, ErrorView};
use crate::tuple::Tuple;
use crate::value::{EnumType, EnumVariant, Function, Storage, StructType, Value, ValueView};
use std::rc::Rc;
use vstd::prelude::*;
use vstd::std_specs::convert::TryFromSpecImpl;

verus! {

impl<H> TryFrom<Value<H>> for Tuple<H> {
    type Error = Error<H>;

    /// The tuple that `value` is, or `ExpectedTuple` with `value`.
    fn try_from(value: Value<H>) -> (result: Result<Self, Error<H>>)
        ensures
            match result {
                Ok(tuple) => value@ == ValueView::Tuple(tuple@),
                Err(e) => !(value@ is Tuple) && e@ == ErrorView::ExpectedTuple(value@),
            },
    {
        match value.storage {
            Storage::Tuple(tuple) => Ok(tuple),
            storage => Err(Error::ExpectedTuple(Value { storage })),
        }
    }
}

impl<H> TryFromSpecImpl<Value<H>> for Tuple<H> {
    open spec fn obeys_try_from_spec() -> bool {
        true
    }

    open spec fn try_from_spec(value: Value<H>) -> Result<Self, Error<H>> {
        match value.storage {
            Storage::Tuple(tuple) => Ok(tuple),
            _ => Err(Error::ExpectedTuple(value)),
        }
    }
}

impl<H> TryFrom<Value<H>> for Rc<Function<H>> {
    type Error = Error<H>;

    /// The shared function that `value` is, or `ExpectedFunction` with `value`.
    fn try_from(value: Value<H>) -> (result: Result<Self, Error<H>>)
        ensures
            match result {
                Ok(payload) => value@ == ValueView::Function(Box::new(payload@)),
                Err(e) => !(value@ is Function) && e@ == ErrorView::ExpectedFunction(value@),
            },
    {
        match value.storage {
            Storage::Function(payload) => Ok(payload),
            storage => Err(Error::ExpectedFunction(Value { storage })),
        }
    }
}

impl<H> TryFromSpecImpl<Value<H>> for Rc<Function<H>> {
    open spec fn obeys_try_from_spec() -> bool {
        true
    }

    open spec fn try_from_spec(value: Value<H>) -> Result<Self, Error<H>> {
        match value.storage {
            Storage::Function(payload) => Ok(payload),
            _ => Err(Error::ExpectedFunction(value)),
        }
    }
}

impl<H: Copy> TryFrom<Value<H>> for Function<H> {
    type Error = Error<H>;

    /// The function that `value` is, taken out of its shared cell or copied
    /// from it, or `ExpectedFunction` with `value`.
    fn try_from(value: Value<H>) -> (result: Result<Self, Error<H>>)
        ensures
            match result {
                Ok(payload) => value@ == ValueView::Function(Box::new(payload@)),
                Err(e) => !(value@ is Function) && e@ == ErrorView::ExpectedFunction(value@),
            },
    {
        match Rc::<Function<H>>::try_from(value) {
            Ok(cell) => Ok(
                match Rc::try_unwrap(cell) {
                    Ok(payload) => payload,
                    Err(cell) => (*cell).clone(),
                },
            ),
            Err(e) => Err(e),
        }
    }
}

/// A copy of a function holds its captures in a vector of its own: what
/// `try_from` gives is stated of its view, not of the function itself.
impl<H: Copy> TryFromSpecImpl<Value<H>> for Function<H> {
    open spec fn obeys_try_from_spec() -> bool {
        false
    }

    open spec fn try_from_spec(value: Value<H>) -> Result<Self, Error<H>> {
        match value.storage {
            Storage::Function(payload) => Ok(*payload),
            _ => Err(Error::ExpectedFunction(value)),
        }
    }
}

impl<H> TryFrom<Value<H>> for Rc<EnumVariant<H>> {
    type Error = Error<H>;

    /// The shared enum variant that `value` is, or `ExpectedEnumVariant` with `value`.
    fn try_from(value: Value<H>) -> (result: Result<Self, Error<H>>)
        ensures
            match result {
                Ok(payload) => value@ == ValueView::EnumVariant(Box::new(payload@)),
                Err(e) => !(value@ is EnumVariant) && e@ == ErrorView::ExpectedEnumVariant(value@),
            },
    {
        match value.storage {
            Storage::EnumVariant(payload) => Ok(payload),
            storage => Err(Error::ExpectedEnumVariant(Value { storage })),
        }
    }
}

impl<H> TryFromSpecImpl<Value<H>> for Rc<EnumVariant<H>> {
    open spec fn obeys_try_from_spec() -> bool {
        true
    }

    open spec fn try_from_spec(value: Value<H>) -> Result<Self, Error<H>> {
        match value.storage {
            Storage::EnumVariant(payload) => Ok(payload),
            _ => Err(Error::ExpectedEnumVariant(value)),
        }
    }
}

impl<H: Copy> TryFrom<Value<H>> for EnumVariant<H> {
    type Error = Error<H>;

    /// The enum variant that `value` is, taken out of its shared cell or copied
    /// from it, or `ExpectedEnumVariant` with `value`.
    fn try_from(value: Value<H>) -> (result: Result<Self, Error<H>>)
        ensures
            match result {
                Ok(payload) => value@ == ValueView::EnumVariant(Box::new(payload@)),
                Err(e) => !(value@ is EnumVariant) && e@ == ErrorView::ExpectedEnumVariant(value@),
            },
    {
        match Rc::<EnumVariant<H>>::try_from(value) {
            Ok(cell) => Ok(
                match Rc::try_unwrap(cell) {
                    Ok(payload) => payload,
                    Err(cell) => (*cell).clone(),
                },
            ),
            Err(e) => Err(e),
        }
    }
}

impl<H: Copy> TryFromSpecImpl<Value<H>> for EnumVariant<H> {
    open spec fn obeys_try_from_spec() -> bool {
        true
    }

    open spec fn try_from_spec(value: Value<H>) -> Result<Self, Error<H>> {
        match value.storage {
            Storage::EnumVariant(payload) => Ok(*payload),
            _ => Err(Error::ExpectedEnumVariant(value)),
        }
    }
}

impl<H> TryFrom<Value<H>> for Rc<EnumType<H>> {
    type Error = Error<H>;

    /// The shared enum type that `value` is, or `ExpectedEnumType` with `value`.
    fn try_from(value: Value<H>) -> (result: Result<Self, Error<H>>)
        ensures
            match result {
                Ok(payload) => value@ == ValueView::EnumType(payload@),
                Err(e) => !(value@ is EnumType) && e@ == ErrorView::ExpectedEnumType(value@),
            },
    {
        match value.storage {
            Storage::EnumType(payload) => Ok(payload),
            storage => Err(Error::ExpectedEnumType(Value { storage })),
        }
    }
}

impl<H> TryFromSpecImpl<Value<H>> for Rc<EnumType<H>> {
    open spec fn obeys_try_from_spec() -> bool {
        true
    }

    open spec fn try_from_spec(value: Value<H>) -> Result<Self, Error<H>> {
        match value.storage {
            Storage::EnumType(payload) => Ok(payload),
            _ => Err(Error::ExpectedEnumType(value)),
        }
    }
}

impl<H: Copy> TryFrom<Value<H>> for EnumType<H> {
    type Error = Error<H>;

    /// The enum type that `value` is, taken out of its shared cell or copied
    /// from it, or `ExpectedEnumType` with `value`.
    fn try_from(value: Value<H>) -> (result: Result<Self, Error<H>>)
        ensures
            match result {
                Ok(payload) => value@ == ValueView::EnumType(payload@),
                Err(e) => !(value@ is EnumType) && e@ == ErrorView::ExpectedEnumType(value@),
            },
    {
        match Rc::<EnumType<H>>::try_from(value) {
            Ok(cell) => Ok(
                match Rc::try_unwrap(cell) {
                    Ok(payload) => payload,
                    Err(cell) => (*cell).clone(),
                },
            ),
            Err(e) => Err(e),
        }
    }
}

impl<H: Copy> TryFromSpecImpl<Value<H>> for EnumType<H> {
    open spec fn obeys_try_from_spec() -> bool {
        true
    }

    open spec fn try_from_spec(value: Value<H>) -> Result<Self, Error<H>> {
        match value.storage {
            Storage::EnumType(payload) => Ok(*payload),
            _ => Err(Error::ExpectedEnumType(value)),
        }
    }
}

impl<H> TryFrom<Value<H>> for Rc<StructType<H>> {
    type Error = Error<H>;

    /// The shared struct type that `value` is, or `ExpectedStructType` with `value`.
    fn try_from(value: Value<H>) -> (result: Result<Self, Error<H>>)
        ensures
            match result {
                Ok(payload) => value@ == ValueView::StructType(Box::new(payload@)),
                Err(e) => !(value@ is StructType) && e@ == ErrorView::ExpectedStructType(value@),
            },
    {
        match value.storage {
            Storage::StructType(payload) => Ok(payload),
            storage => Err(Error::ExpectedStructType(Value { storage })),
        }
    }
}

impl<H> TryFromSpecImpl<Value<H>> for Rc<StructType<H>> {
    open spec fn obeys_try_from_spec() -> bool {
        true
    }

    open spec fn try_from_spec(value: Value<H>) -> Result<Self, Error<H>> {
        match value.storage {
            Storage::StructType(payload) => Ok(payload),
            _ => Err(Error::ExpectedStructType(value)),
        }
    }
}

impl<H: Copy> TryFrom<Value<H>> for StructType<H> {
    type Error = Error<H>;

    /// The struct type that `value` is, taken out of its shared cell or copied
    /// from it, or `ExpectedStructType` with `value`.
    fn try_from(value: Value<H>) -> (result: Result<Self, Error<H>>)
        ensures
            match result {
                Ok(payload) => value@ == ValueView::StructType(Box::new(payload@)),
                Err(e) => !(value@ is StructType) && e@ == ErrorView::ExpectedStructType(value@),
            },
    {
        match Rc::<StructType<H>>::try_from(value) {
            Ok(cell) => Ok(
                match Rc::try_unwrap(cell) {
                    Ok(payload) => payload,
                    Err(cell) => (*cell).clone(),
                },
            ),
            Err(e) => Err(e),
        }
    }
}

impl<H: Copy> TryFromSpecImpl<Value<H>> for StructType<H> {
    open spec fn obeys_try_from_spec() -> bool {
        true
    }

    open spec fn try_from_spec(value: Value<H>) -> Result<Self, Error<H>> {
        match value.storage {
            Storage::StructType(payload) => Ok(*payload),
            _ => Err(Error::ExpectedStructType(value)),
        }
    }
}

impl<H> Value<H> {
    /// The tuple that this value is, or `ExpectedTuple` with this value.
    pub fn into_tuple(self) -> (result: Result<Tuple<H>, Error<H>>)
        ensures
            match result {
                Ok(tuple) => self@ == ValueView::Tuple(tuple@),
                Err(e) => !(self@ is Tuple) && e@ == ErrorView::ExpectedTuple(self@),
            },
    {
        Tuple::try_from(self)
    }

    /// The tuple that this value is, or nothing for `Unit`; any other value
    /// is refused with `ExpectedTuple`.
    pub fn into_tuple_or_unit(self) -> (result: Result<Option<Tuple<H>>, Error<H>>)
        ensures
            match result {
                Ok(Some(tuple)) => self@ == ValueView::Tuple(tuple@),
                Ok(None) => self@ is Unit,
                Err(e) => !(self@ is Tuple) && !(self@ is Unit) && e@ == ErrorView::ExpectedTuple(
                    self@,
                ),
            },
    {
        match self.into_tuple() {
            Ok(tuple) => Ok(Some(tuple)),
            Err(Error::ExpectedTuple(Value { storage: Storage::Unit })) => Ok(None),
            Err(e) => Err(e),
        }
    }

    /// The shared function that this value is, or `ExpectedFunction` with this value.
    pub fn into_function(self) -> (result: Result<Rc<Function<H>>, Error<H>>)
        ensures
            match result {
                Ok(payload) => self@ == ValueView::Function(Box::new(payload@)),
                Err(e) => !(self@ is Function) && e@ == ErrorView::ExpectedFunction(self@),
            },
    {
        Rc::<Function<H>>::try_from(self)
    }

    /// The shared enum variant that this value is, or `ExpectedEnumVariant` with this value.
    pub fn into_enum_variant(self) -> (result: Result<Rc<EnumVariant<H>>, Error<H>>)
        ensures
            match result {
                Ok(payload) => self@ == ValueView::EnumVariant(Box::new(payload@)),
                Err(e) => !(self@ is EnumVariant) && e@ == ErrorView::ExpectedEnumVariant(self@),
            },
    {
        Rc::<EnumVariant<H>>::try_from(self)
    }

    /// The shared enum type that this value is, or `ExpectedEnumType` with this value.
    pub fn into_enum_type(self) -> (result: Result<Rc<EnumType<H>>, Error<H>>)
        ensures
            match result {
                Ok(payload) => self@ == ValueView::EnumType(payload@),
                Err(e) => !(self@ is EnumType) && e@ == ErrorView::ExpectedEnumType(self@),
            },
    {
        Rc::<EnumType<H>>::try_from(self)
    }

    /// The shared struct type that this value is, or `ExpectedStructType` with this value.
    pub fn into_struct_type(self) -> (result: Result<Rc<StructType<H>>, Error<H>>)
        ensures
            match result {
                Ok(payload) => self@ == ValueView::StructType(Box::new(payload@)),
                Err(e) => !(self@ is StructType) && e@ == ErrorView::ExpectedStructType(self@),
            },
    {
        Rc::<StructType<H>>::try_from(self)
    }
}

} // verus!
