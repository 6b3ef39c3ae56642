//! First-class functions: piping arguments in, and evaluating.

use crate::concat::{concat_spec, law_concat_associative};
use crate::conformance::conforms;
use crate::error::{result_view, Error, ErrorView};
use crate::program::{Program, ProgramView};
use crate::value::{
    values_view, ActionView, EnumTypeView, EnumVariant, EnumVariantView, Function, FunctionAction,
    FunctionView, Storage, Value, ValueView,
};
use std::rc::Rc;
use vstd::prelude::*;

verus! {

/// What evaluating a function comes to.
#[derive(Debug)]
pub enum Evaluation<H> {
    /// The function produced this value.
    Value(Value<H>),
    /// The function is a bytecode block: it is for the caller to run block
    /// `block_id` of `program` with `captures`, whose last entry is the
    /// function's argument.
    Invoke { program: Program, block_id: usize, captures: Vec<Value<H>> },
}

/// The mathematical content of an [`Evaluation`].
pub enum EvaluationView<H> {
    Value(ValueView<H>),
    Invoke { program: ProgramView, block_id: usize, captures: Seq<ValueView<H>> },
}

impl<H> View for Evaluation<H> {
    type V = EvaluationView<H>;

    open spec fn view(&self) -> EvaluationView<H> {
        match *self {
            Evaluation::Value(v) => EvaluationView::Value(v@),
            Evaluation::Invoke { program, block_id, captures } => EvaluationView::Invoke {
                program: program@,
                block_id,
                captures: values_view(captures@),
            },
        }
    }
}

impl<H> FunctionView<H> {
    /// Whether the function can be evaluated: an enum constructor names a
    /// variant that its enum type has.
    pub open spec fn wf(self) -> bool {
        match self.action {
            ActionView::Enum { variant, definition } => variant < definition.variants.len(),
            _ => true,
        }
    }
}

/// The payload type that an enum type declares for its variant `variant`.
pub open spec fn payload_type<H>(definition: EnumTypeView<H>, variant: usize) -> ValueView<H> {
    definition.variants[variant as int].1
}

/// The function `f` with `argument` piped in: the pending argument becomes
/// its concatenation with `argument`, the action stays.
pub open spec fn piped_spec<H>(f: FunctionView<H>, argument: ValueView<H>) -> FunctionView<H> {
    FunctionView { action: f.action, argument: concat_spec(f.argument, argument) }
}

/// What evaluating `f` comes to.
///
/// A block is handed back to be run with the argument as its last capture. An
/// enum constructor checks the argument against the variant's payload type and
/// wraps it. The `OptionSome` constructor wraps any argument; the `OptionNone`
/// constructor takes only `Unit`.
pub open spec fn eval_spec<H>(f: FunctionView<H>) -> Result<EvaluationView<H>, ErrorView<H>> {
    match f.action {
        ActionView::Block { program, block_id, captures } => Ok(
            EvaluationView::Invoke { program, block_id, captures: captures.push(f.argument) },
        ),
        ActionView::Enum { variant, definition } => {
            let ty = payload_type(definition, variant);
            if conforms(f.argument, ty) {
                Ok(
                    EvaluationView::Value(
                        ValueView::EnumVariant(
                            Box::new(EnumVariantView { contents: f.argument, variant, definition }),
                        ),
                    ),
                )
            } else {
                Err(ErrorView::TypeError { value: f.argument, ty })
            }
        },
        ActionView::OptionSome => Ok(
            EvaluationView::Value(ValueView::OptionSome(Box::new(f.argument))),
        ),
        ActionView::OptionNone => if conforms(f.argument, ValueView::Unit) {
            Ok(EvaluationView::Value(ValueView::OptionNone))
        } else {
            Err(ErrorView::TypeError { value: f.argument, ty: ValueView::Unit })
        },
    }
}

impl<H: Copy> Function<H> {
    /// Whether the function can be evaluated: an enum constructor names a
    /// variant that its enum type has.
    pub fn is_well_formed(&self) -> (well_formed: bool)
        ensures
            well_formed == self@.wf(),
    {
        match &self.action {
            FunctionAction::Enum { variant, definition } => *variant < definition.variants.len(),
            _ => true,
        }
    }

    /// Evaluates the function on the argument piped in so far.
    ///
    /// The function must be well formed: a constructor of a variant that its
    /// enum type lacks cannot be evaluated.
    pub fn eval(self) -> (result: Result<Evaluation<H>, Error<H>>)
        requires
            self@.wf(),
        ensures
            result_view(result) == eval_spec(self@),
    {
        match self.action {
            FunctionAction::Block { program, block_id, captures } => {
                let mut captures = captures;
                let ghost before = captures@;
                captures.push(self.argument);
                proof {
                    assert(values_view(captures@) =~= values_view(before).push(self.argument@));
                }
                Ok(Evaluation::Invoke { program, block_id, captures })
            },
            FunctionAction::Enum { variant, definition } => {
                let ty = definition.variants.index(variant).1.clone();
                if !self.argument.type_cmp(&ty) {
                    return Err(Error::TypeError { value: self.argument, ty });
                }
                Ok(
                    Evaluation::Value(
                        Value {
                            storage: Storage::EnumVariant(
                                Rc::new(EnumVariant { contents: self.argument, variant, definition }),
                            ),
                        },
                    ),
                )
            },
            FunctionAction::OptionSome => Ok(
                Evaluation::Value(Value { storage: Storage::OptionSome(Rc::new(self.argument)) }),
            ),
            FunctionAction::OptionNone => {
                let unit = Value { storage: Storage::Unit };
                if !self.argument.type_cmp(&unit) {
                    return Err(Error::TypeError { value: self.argument, ty: unit });
                }
                Ok(Evaluation::Value(Value { storage: Storage::OptionNone }))
            },
        }
    }

    /// Concatenates the function's pending argument with `argument`.
    pub fn pipe(&mut self, argument: Value<H>)
        ensures
            final(self)@ == piped_spec(old(self)@, argument@),
    {
        let mut arguments = Value { storage: Storage::Unit };
        std::mem::swap(&mut arguments, &mut self.argument);
        arguments = arguments.concat(argument);
        std::mem::swap(&mut arguments, &mut self.argument);
    }

    /// The function with `argument` piped in.
    pub fn piped(self, argument: Value<H>) -> (result: Self)
        ensures
            result@ == piped_spec(self@, argument@),
    {
        let mut function = self;
        function.pipe(argument);
        function
    }
}

/// The function `action` with nothing piped in yet.
pub open spec fn fresh<H>(action: ActionView<H>) -> FunctionView<H> {
    FunctionView { action, argument: ValueView::Unit }
}

/// Piping is associative: piping `a` and then `b` leaves the same function as
/// piping the concatenation of `a` and `b`.
pub proof fn law_piping_associative<H>(f: FunctionView<H>, a: ValueView<H>, b: ValueView<H>)
    ensures
        piped_spec(piped_spec(f, a), b) == piped_spec(f, concat_spec(a, b)),
        piped_spec(piped_spec(f, a), b).argument == piped_spec(f, concat_spec(a, b)).argument,
{
    law_concat_associative(f.argument, a, b);
}

/// An enum constructor round-trips: applied to a value `x` that conforms to
/// the payload type of its variant, it yields the enum variant made of that
/// variant index, that enum type and `x`, which is a variant that the enum
/// type has.
pub proof fn law_enum_constructor_round_trip<H>(
    definition: EnumTypeView<H>,
    variant: usize,
    x: ValueView<H>,
)
    requires
        variant < definition.variants.len(),
        conforms(x, payload_type(definition, variant)),
    ensures
        eval_spec(piped_spec(fresh(ActionView::Enum { variant, definition }), x)) == Ok::<
            EvaluationView<H>,
            ErrorView<H>,
        >(
            EvaluationView::Value(
                ValueView::EnumVariant(Box::new(EnumVariantView { contents: x, variant, definition })),
            ),
        ),
        (EnumVariantView { contents: x, variant, definition }).wf(),
{
}

/// The `OptionSome` constructor wraps whatever is piped into it.
pub proof fn law_option_some_wraps<H>(v: ValueView<H>)
    ensures
        eval_spec(piped_spec(fresh(ActionView::OptionSome), v)) == Ok::<
            EvaluationView<H>,
            ErrorView<H>,
        >(EvaluationView::Value(ValueView::OptionSome(Box::new(v)))),
{
}

/// The `OptionNone` constructor yields the absent option when `Unit` is piped
/// into it, and refuses every other argument as a type error against `Unit`.
pub proof fn law_option_none_takes_unit<H>(v: ValueView<H>)
    ensures
        v is Unit ==> eval_spec(piped_spec(fresh(ActionView::OptionNone), v)) == Ok::<
            EvaluationView<H>,
            ErrorView<H>,
        >(EvaluationView::Value(ValueView::OptionNone)),
        !(v is Unit) ==> eval_spec(piped_spec(fresh(ActionView::OptionNone), v)) == Err::<
            EvaluationView<H>,
            ErrorView<H>,
        >(ErrorView::TypeError { value: v, ty: ValueView::Unit }),
{
}

} // verus!
