//! The errors that evaluation can raise.

use crate::value::{value_view, Value, ValueView};
use vstd::prelude::*;
use vstd::std_specs::convert::FromSpecImpl;

verus! {

/// `std::str::Utf8Error`, carried through unopened.
#[verifier::external_type_specification]
#[verifier::external_body]
pub struct ExUtf8Error(std::str::Utf8Error);

/// Everything that can go wrong while values are compared, projected or
/// evaluated. An error carries the values that caused it.
#[derive(Debug)]
pub enum Error<H> {
    /// Arithmetic met two values that are not both integers.
    ExpectedNumbers(Value<H>, Value<H>),
    /// A function was needed, and this value is none.
    ExpectedFunction(Value<H>),
    /// An enum variant was needed, and this value is none.
    ExpectedEnumVariant(Value<H>),
    /// An enum type was needed, and this value is none.
    ExpectedEnumType(Value<H>),
    /// A struct type was needed, and this value is none.
    ExpectedStructType(Value<H>),
    /// A tuple was needed, and this value is none.
    ExpectedTuple(Value<H>),
    /// Two values whose forms do not allow equality were compared.
    IncomparableValues(Value<H>, Value<H>),
    /// A value does not conform to the type that was asked of it.
    TypeError { value: Value<H>, ty: Value<H> },
    /// A container holds nothing at an index.
    IndexNotFound { index: Value<H>, container: Value<H> },
    /// Errors that occur during host interop.
    ExternError(ExternError),
    /// Errors that occur due to invalid bytecode.
    InvalidBytecode(InvalidBytecode),
}

/// Errors raised by host objects.
#[derive(Debug)]
pub enum ExternError {
    /// The host object cannot be called.
    MissingFunctionImpl,
    /// The host object cannot be indexed.
    MissingIndexImpl,
    /// The host object is in use by another call.
    BorrowMutError,
    /// Any other failure of the host, as its message.
    Other(String),
}

/// Errors raised by ill-formed bytecode.
#[derive(Debug)]
pub enum InvalidBytecode {
    /// Caused by an imbalance in stack operations.
    StackUnderflow,
    /// An instruction byte had an unexpected value.
    InvalidInstruction,
    /// An instruction referred to a string id that did not exist.
    UnexpectedStringId,
    /// The header is too short or describes a program which is longer than
    /// the provided bytes.
    MalformedHeader,
    /// The program counter became greater than the length of the program.
    ProgramOutOfBounds,
    /// A stack access went beyond the length of the stack.
    StackOutOfBounds,
    /// A string of the program is not UTF-8.
    Utf8Error(std::str::Utf8Error),
}

/// The mathematical content of an [`Error`].
pub enum ErrorView<H> {
    ExpectedNumbers(ValueView<H>, ValueView<H>),
    ExpectedFunction(ValueView<H>),
    ExpectedEnumVariant(ValueView<H>),
    ExpectedEnumType(ValueView<H>),
    ExpectedStructType(ValueView<H>),
    ExpectedTuple(ValueView<H>),
    IncomparableValues(ValueView<H>, ValueView<H>),
    TypeError { value: ValueView<H>, ty: ValueView<H> },
    IndexNotFound { index: ValueView<H>, container: ValueView<H> },
    ExternError(ExternError),
    InvalidBytecode(InvalidBytecode),
}

impl<H> View for Error<H> {
    type V = ErrorView<H>;

    open spec fn view(&self) -> ErrorView<H> {
        match *self {
            Error::ExpectedNumbers(l, r) => ErrorView::ExpectedNumbers(value_view(l), value_view(r)),
            Error::ExpectedFunction(v) => ErrorView::ExpectedFunction(value_view(v)),
            Error::ExpectedEnumVariant(v) => ErrorView::ExpectedEnumVariant(value_view(v)),
            Error::ExpectedEnumType(v) => ErrorView::ExpectedEnumType(value_view(v)),
            Error::ExpectedStructType(v) => ErrorView::ExpectedStructType(value_view(v)),
            Error::ExpectedTuple(v) => ErrorView::ExpectedTuple(value_view(v)),
            Error::IncomparableValues(l, r) => ErrorView::IncomparableValues(
                value_view(l),
                value_view(r),
            ),
            Error::TypeError { value, ty } => ErrorView::TypeError {
                value: value_view(value),
                ty: value_view(ty),
            },
            Error::IndexNotFound { index, container } => ErrorView::IndexNotFound {
                index: value_view(index),
                container: value_view(container),
            },
            Error::ExternError(e) => ErrorView::ExternError(e),
            Error::InvalidBytecode(e) => ErrorView::InvalidBytecode(e),
        }
    }
}

impl<H> From<ExternError> for Error<H> {
    /// The host's error as an evaluation error.
    fn from(e: ExternError) -> (error: Self)
        ensures
            error@ == ErrorView::<H>::ExternError(e),
    {
        Error::ExternError(e)
    }
}

impl<H> FromSpecImpl<ExternError> for Error<H> {
    open spec fn obeys_from_spec() -> bool {
        true
    }

    open spec fn from_spec(e: ExternError) -> Self {
        Error::ExternError(e)
    }
}

impl<H> From<InvalidBytecode> for Error<H> {
    /// The bytecode error as an evaluation error.
    fn from(e: InvalidBytecode) -> (error: Self)
        ensures
            error@ == ErrorView::<H>::InvalidBytecode(e),
    {
        Error::InvalidBytecode(e)
    }
}

impl<H> FromSpecImpl<InvalidBytecode> for Error<H> {
    open spec fn obeys_from_spec() -> bool {
        true
    }

    open spec fn from_spec(e: InvalidBytecode) -> Self {
        Error::InvalidBytecode(e)
    }
}

/// The mathematical content of a result: that of its value, or that of its
/// error.
pub open spec fn result_view<T: View, H>(result: Result<T, Error<H>>) -> Result<T::V, ErrorView<H>> {
    match result {
        Ok(value) => Ok(value@),
        Err(e) => Err(e@),
    }
}

} // verus!
