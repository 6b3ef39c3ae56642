//! The value model: a tagged union of primitive, composite and type-valued
//! forms, and the mathematical view of each.
//!
//! Composite payloads are shared and never change once built, so a clone is
//! cheap and equal to what it was cloned from. Sharing cannot be observed:
//! the view of a value is what it holds, whoever else holds it.
//!
//! Struct and enum types are nominal. Each carries an identity, its `id`,
//! given by whoever declares the type; two declarations are the same type
//! exactly when their identities agree.

use crate::program::{Program, ProgramView};
use crate::tuple::{tuple_view, EntryView, Tuple};
use std::rc::Rc;
use vstd::prelude::*;
use vstd::std_specs::convert::FromSpecImpl;

verus! {

/// A value of the language. Every type is a value, too.
#[derive(Debug)]
pub struct Value<H> {
    pub storage: Storage<H>,
}

/// The forms a [`Value`] can take. `H` is the host's reference type: what a
/// `Borrow` carries.
#[derive(Debug)]
pub enum Storage<H> {
    /// Unit is a special case of tuple. It behaves as both an empty tuple and
    /// an empty named tuple, as well as the type of itself.
    Unit,
    Tuple(Tuple<H>),
    /// An opaque reference to host-owned data.
    Borrow(H),
    I64(i64),
    Bool(bool),
    String(Rc<str>),
    Function(Rc<Function<H>>),
    EnumVariant(Rc<EnumVariant<H>>),
    OptionSome(Rc<Value<H>>),
    OptionNone,
    /// The type every value conforms to.
    Any,
    I64Type,
    BoolType,
    StringType,
    StructType(Rc<StructType<H>>),
    EnumType(Rc<EnumType<H>>),
    Option,
    /// The type of types.
    Type,
}

/// A first-class callable: what to do, and the argument piped in so far.
#[derive(Debug)]
pub struct Function<H> {
    pub action: FunctionAction<H>,
    pub argument: Value<H>,
}

/// What evaluating a [`Function`] does.
#[derive(Debug)]
pub enum FunctionAction<H> {
    /// Runs a bytecode block in its captured environment.
    Block { program: Program, block_id: usize, captures: Vec<Value<H>> },
    /// Constructs a variant of an enum.
    Enum { variant: usize, definition: Rc<EnumType<H>> },
    /// Constructs a present option.
    OptionSome,
    /// Constructs the absent option.
    OptionNone,
}

/// A nominal struct type: an identity, and what the type is made of.
#[derive(Debug)]
pub struct StructType<H> {
    pub id: u64,
    pub inner: Value<H>,
}

/// An inhabitant of an enum: the value it carries, the position of its
/// variant in the enum type, and that type.
#[derive(Debug)]
pub struct EnumVariant<H> {
    pub contents: Value<H>,
    pub variant: usize,
    pub definition: Rc<EnumType<H>>,
}

/// A nominal enum type: an identity, and an ordered tuple of variant names
/// and payload types.
#[derive(Debug)]
pub struct EnumType<H> {
    pub id: u64,
    pub variants: Tuple<H>,
}

/// The mathematical content of a [`Value`]: shared payloads are replaced by
/// what they hold, tuples by sequences and strings by their characters.
pub enum ValueView<H> {
    Unit,
    Tuple(Seq<EntryView<H>>),
    Borrow(H),
    I64(i64),
    Bool(bool),
    String(Seq<char>),
    Function(Box<FunctionView<H>>),
    EnumVariant(Box<EnumVariantView<H>>),
    OptionSome(Box<ValueView<H>>),
    OptionNone,
    Any,
    I64Type,
    BoolType,
    StringType,
    StructType(Box<StructTypeView<H>>),
    EnumType(EnumTypeView<H>),
    Option,
    Type,
}

/// The mathematical content of a [`Function`].
pub struct FunctionView<H> {
    pub action: ActionView<H>,
    pub argument: ValueView<H>,
}

/// The mathematical content of a [`FunctionAction`].
pub enum ActionView<H> {
    Block { program: ProgramView, block_id: usize, captures: Seq<ValueView<H>> },
    Enum { variant: usize, definition: EnumTypeView<H> },
    OptionSome,
    OptionNone,
}

/// The mathematical content of a [`StructType`].
pub struct StructTypeView<H> {
    pub id: u64,
    pub inner: ValueView<H>,
}

/// The mathematical content of an [`EnumVariant`].
pub struct EnumVariantView<H> {
    pub contents: ValueView<H>,
    pub variant: usize,
    pub definition: EnumTypeView<H>,
}

/// The mathematical content of an [`EnumType`].
pub struct EnumTypeView<H> {
    pub id: u64,
    pub variants: Seq<EntryView<H>>,
}

/// The mathematical content of a value.
///
/// The views of functions, enum variants and types are spelled out in place,
/// so that the definition recurses through itself and through tuples only.
pub open spec fn value_view<H>(v: Value<H>) -> ValueView<H>
    decreases v,
{
    match v.storage {
        Storage::Unit => ValueView::Unit,
        Storage::Tuple(t) => ValueView::Tuple(tuple_view(t)),
        Storage::Borrow(h) => ValueView::Borrow(h),
        Storage::I64(n) => ValueView::I64(n),
        Storage::Bool(b) => ValueView::Bool(b),
        Storage::String(s) => ValueView::String((*s)@),
        Storage::Function(f) => ValueView::Function(
            Box::new(
                FunctionView {
                    action: match f.action {
                        FunctionAction::Block { program, block_id, captures } => ActionView::Block {
                            program: program@,
                            block_id,
                            captures: values_view(captures@),
                        },
                        FunctionAction::Enum { variant, definition } => ActionView::Enum {
                            variant,
                            definition: EnumTypeView {
                                id: definition.id,
                                variants: tuple_view(definition.variants),
                            },
                        },
                        FunctionAction::OptionSome => ActionView::OptionSome,
                        FunctionAction::OptionNone => ActionView::OptionNone,
                    },
                    argument: value_view(f.argument),
                },
            ),
        ),
        Storage::EnumVariant(e) => ValueView::EnumVariant(
            Box::new(
                EnumVariantView {
                    contents: value_view(e.contents),
                    variant: e.variant,
                    definition: EnumTypeView {
                        id: e.definition.id,
                        variants: tuple_view(e.definition.variants),
                    },
                },
            ),
        ),
        Storage::OptionSome(inner) => ValueView::OptionSome(Box::new(value_view(*inner))),
        Storage::OptionNone => ValueView::OptionNone,
        Storage::Any => ValueView::Any,
        Storage::I64Type => ValueView::I64Type,
        Storage::BoolType => ValueView::BoolType,
        Storage::StringType => ValueView::StringType,
        Storage::StructType(t) => ValueView::StructType(
            Box::new(StructTypeView { id: t.id, inner: value_view(t.inner) }),
        ),
        Storage::EnumType(t) => ValueView::EnumType(
            EnumTypeView { id: t.id, variants: tuple_view(t.variants) },
        ),
        Storage::Option => ValueView::Option,
        Storage::Type => ValueView::Type,
    }
}

/// The mathematical content of a run of values, value by value.
pub open spec fn values_view<H>(values: Seq<Value<H>>) -> Seq<ValueView<H>>
    decreases values,
{
    Seq::new(
        values.len(),
        |i: int|
            if 0 <= i < values.len() {
                value_view(values[i])
            } else {
                arbitrary()
            },
    )
}

impl<H> View for Value<H> {
    type V = ValueView<H>;

    open spec fn view(&self) -> ValueView<H> {
        value_view(*self)
    }
}

impl<H> View for Function<H> {
    type V = FunctionView<H>;

    open spec fn view(&self) -> FunctionView<H> {
        FunctionView { action: self.action@, argument: self.argument@ }
    }
}

impl<H> View for FunctionAction<H> {
    type V = ActionView<H>;

    open spec fn view(&self) -> ActionView<H> {
        match *self {
            FunctionAction::Block { program, block_id, captures } => ActionView::Block {
                program: program@,
                block_id,
                captures: values_view(captures@),
            },
            FunctionAction::Enum { variant, definition } => ActionView::Enum {
                variant,
                definition: definition@,
            },
            FunctionAction::OptionSome => ActionView::OptionSome,
            FunctionAction::OptionNone => ActionView::OptionNone,
        }
    }
}

impl<H> View for StructType<H> {
    type V = StructTypeView<H>;

    open spec fn view(&self) -> StructTypeView<H> {
        StructTypeView { id: self.id, inner: self.inner@ }
    }
}

impl<H> View for EnumVariant<H> {
    type V = EnumVariantView<H>;

    open spec fn view(&self) -> EnumVariantView<H> {
        EnumVariantView {
            contents: self.contents@,
            variant: self.variant,
            definition: self.definition@,
        }
    }
}

impl<H> View for EnumType<H> {
    type V = EnumTypeView<H>;

    open spec fn view(&self) -> EnumTypeView<H> {
        EnumTypeView { id: self.id, variants: self.variants@ }
    }
}

impl<H> Default for Storage<H> {
    /// `Unit`.
    fn default() -> (storage: Self)
        ensures
            storage is Unit,
    {
        Storage::Unit
    }
}

impl<H> From<Storage<H>> for Value<H> {
    /// The value stored as `storage`.
    fn from(storage: Storage<H>) -> (value: Self)
        ensures
            value.storage == storage,
    {
        Value { storage }
    }
}

impl<H> FromSpecImpl<Storage<H>> for Value<H> {
    open spec fn obeys_from_spec() -> bool {
        true
    }

    open spec fn from_spec(storage: Storage<H>) -> Self {
        Value { storage }
    }
}

impl<H: Copy> Clone for Storage<H> {
    fn clone(&self) -> (res: Self)
        ensures
            res == *self,
    {
        match self {
            Storage::Unit => Storage::Unit,
            Storage::Tuple(t) => Storage::Tuple(t.clone()),
            Storage::Borrow(h) => Storage::Borrow(*h),
            Storage::I64(n) => Storage::I64(*n),
            Storage::Bool(b) => Storage::Bool(*b),
            Storage::String(s) => Storage::String(s.clone()),
            Storage::Function(f) => Storage::Function(f.clone()),
            Storage::EnumVariant(e) => Storage::EnumVariant(e.clone()),
            Storage::OptionSome(v) => Storage::OptionSome(v.clone()),
            Storage::OptionNone => Storage::OptionNone,
            Storage::Any => Storage::Any,
            Storage::I64Type => Storage::I64Type,
            Storage::BoolType => Storage::BoolType,
            Storage::StringType => Storage::StringType,
            Storage::StructType(t) => Storage::StructType(t.clone()),
            Storage::EnumType(t) => Storage::EnumType(t.clone()),
            Storage::Option => Storage::Option,
            Storage::Type => Storage::Type,
        }
    }
}

impl<H: Copy> Clone for Value<H> {
    fn clone(&self) -> (res: Self)
        ensures
            res == *self,
    {
        Value { storage: self.storage.clone() }
    }
}

impl<H: Copy> Clone for StructType<H> {
    fn clone(&self) -> (res: Self)
        ensures
            res == *self,
    {
        StructType { id: self.id, inner: self.inner.clone() }
    }
}

impl<H: Copy> Clone for EnumVariant<H> {
    fn clone(&self) -> (res: Self)
        ensures
            res == *self,
    {
        EnumVariant {
            contents: self.contents.clone(),
            variant: self.variant,
            definition: self.definition.clone(),
        }
    }
}

impl<H: Copy> Clone for EnumType<H> {
    fn clone(&self) -> (res: Self)
        ensures
            res == *self,
    {
        EnumType { id: self.id, variants: self.variants.clone() }
    }
}

impl<H: Copy> Clone for FunctionAction<H> {
    fn clone(&self) -> (res: Self)
        ensures
            res@ == self@,
    {
        match self {
            FunctionAction::Block { program, block_id, captures } => {
                let mut copies: Vec<Value<H>> = Vec::new();
                let mut i: usize = 0;
                while i < captures.len()
                    invariant
                        i <= captures@.len(),
                        copies@ == captures@.subrange(0, i as int),
                    decreases captures.len() - i,
                {
                    copies.push(captures[i].clone());
                    i += 1;
                }
                proof {
                    assert(copies@ =~= captures@);
                }
                FunctionAction::Block {
                    program: program.clone(),
                    block_id: *block_id,
                    captures: copies,
                }
            },
            FunctionAction::Enum { variant, definition } => FunctionAction::Enum {
                variant: *variant,
                definition: definition.clone(),
            },
            FunctionAction::OptionSome => FunctionAction::OptionSome,
            FunctionAction::OptionNone => FunctionAction::OptionNone,
        }
    }
}

impl<H: Copy> Clone for Function<H> {
    fn clone(&self) -> (res: Self)
        ensures
            res@ == self@,
    {
        Function { action: self.action.clone(), argument: self.argument.clone() }
    }
}

} // verus!
