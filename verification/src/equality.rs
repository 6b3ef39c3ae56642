//! Structural equality of values.

use crate::error::{result_view, Error, ErrorView};
use crate::tuple::EntryView;
use crate::value::{Storage, Value, ValueView};
use std::rc::Rc;
use vstd::prelude::*;

verus! {

/// What comparing `l` with `r` gives: whether they are equal, or the error
/// raised by the first pair that cannot be compared.
///
/// Values of the same comparable form are compared by content, tuples
/// entry by entry without regard to names, struct and enum types by identity.
/// Strings, functions, host references, and values of different forms are
/// incomparable.
pub open spec fn eq_spec<H>(l: ValueView<H>, r: ValueView<H>) -> Result<bool, ErrorView<H>>
    decreases l, 0nat,
{
    match (l, r) {
        (ValueView::Unit, ValueView::Unit) => Ok(true),
        (ValueView::Tuple(ls), ValueView::Tuple(rs)) => if ls.len() == rs.len() {
            entries_eq_spec(ls, rs, 0)
        } else {
            Ok(false)
        },
        (ValueView::I64(a), ValueView::I64(b)) => Ok(a == b),
        (ValueView::Bool(a), ValueView::Bool(b)) => Ok(a == b),
        (ValueView::EnumVariant(a), ValueView::EnumVariant(b)) => if a.variant == b.variant
            && a.definition.id == b.definition.id {
            eq_spec(a.contents, b.contents)
        } else {
            Ok(false)
        },
        (ValueView::OptionSome(a), ValueView::OptionSome(b)) => eq_spec(*a, *b),
        (ValueView::OptionNone, ValueView::OptionNone) => Ok(true),
        (ValueView::Any, ValueView::Any) => Ok(true),
        (ValueView::I64Type, ValueView::I64Type) => Ok(true),
        (ValueView::BoolType, ValueView::BoolType) => Ok(true),
        (ValueView::StringType, ValueView::StringType) => Ok(true),
        (ValueView::StructType(a), ValueView::StructType(b)) => Ok(a.id == b.id),
        (ValueView::EnumType(a), ValueView::EnumType(b)) => Ok(a.id == b.id),
        (ValueView::Option, ValueView::Option) => Ok(true),
        (ValueView::Type, ValueView::Type) => Ok(true),
        _ => Err(ErrorView::IncomparableValues(l, r)),
    }
}

/// What comparing the entries of `ls` and `rs` from position `from` on gives:
/// the outcome of the first pair that is not equal, or `Ok(true)` when every
/// pair is equal.
pub open spec fn entries_eq_spec<H>(
    ls: Seq<EntryView<H>>,
    rs: Seq<EntryView<H>>,
    from: int,
) -> Result<bool, ErrorView<H>>
    decreases ls, ls.len() - from,
{
    if 0 <= from < ls.len() {
        match eq_spec(ls[from].1, rs[from].1) {
            Ok(true) => entries_eq_spec(ls, rs, from + 1),
            outcome => outcome,
        }
    } else {
        Ok(true)
    }
}

impl<H: Copy> Value<H> {
    /// Compares two values structurally.
    pub fn eq(self, other: Self) -> (result: Result<bool, Error<H>>)
        ensures
            result_view(result) == eq_spec(self@, other@),
        decreases self@,
    {
        match (self.storage, other.storage) {
            (Storage::Unit, Storage::Unit) => Ok(true),
            (Storage::Tuple(l), Storage::Tuple(r)) => {
                if l.len() != r.len() {
                    return Ok(false);
                }
                let mut i: usize = 0;
                while i < l.len()
                    invariant
                        i <= l@.len(),
                        l@.len() == r@.len(),
                        self@ == ValueView::Tuple(l@),
                        other@ == ValueView::Tuple(r@),
                        entries_eq_spec(l@, r@, 0) == entries_eq_spec(l@, r@, i as int),
                    decreases l@.len() - i,
                {
                    let a = l.index(i).1.clone();
                    let b = r.index(i).1.clone();
                    match a.eq(b) {
                        Ok(true) => {},
                        Ok(false) => {
                            return Ok(false);
                        },
                        Err(e) => {
                            return Err(e);
                        },
                    }
                    i += 1;
                }
                Ok(true)
            },
            (Storage::I64(l), Storage::I64(r)) => Ok(l == r),
            (Storage::Bool(l), Storage::Bool(r)) => Ok(l == r),
            (Storage::EnumVariant(l), Storage::EnumVariant(r)) => {
                if l.variant == r.variant && l.definition.id == r.definition.id {
                    l.contents.clone().eq(r.contents.clone())
                } else {
                    Ok(false)
                }
            },
            (Storage::OptionSome(l), Storage::OptionSome(r)) => {
                (*l).clone().eq((*r).clone())
            },
            (Storage::OptionNone, Storage::OptionNone) => Ok(true),
            (Storage::Any, Storage::Any) => Ok(true),
            (Storage::I64Type, Storage::I64Type) => Ok(true),
            (Storage::BoolType, Storage::BoolType) => Ok(true),
            (Storage::StringType, Storage::StringType) => Ok(true),
            (Storage::StructType(l), Storage::StructType(r)) => Ok(l.id == r.id),
            (Storage::EnumType(l), Storage::EnumType(r)) => Ok(l.id == r.id),
            (Storage::Option, Storage::Option) => Ok(true),
            (Storage::Type, Storage::Type) => Ok(true),
            (l, r) => Err(Error::IncomparableValues(Value { storage: l }, Value { storage: r })),
        }
    }
}

/// Whether a value is built only from forms that can be compared: no
/// string, function or host reference occurs where equality would look.
pub open spec fn comparable_with_itself<H>(v: ValueView<H>) -> bool
    decreases v,
{
    match v {
        ValueView::Tuple(entries) => forall|i: int|
            0 <= i < entries.len() ==> comparable_with_itself((#[trigger] entries[i]).1),
        ValueView::EnumVariant(e) => comparable_with_itself(e.contents),
        ValueView::OptionSome(inner) => comparable_with_itself(*inner),
        ValueView::Borrow(_) | ValueView::String(_) | ValueView::Function(_) => false,
        _ => true,
    }
}

proof fn lemma_entries_reflexive<H>(entries: Seq<EntryView<H>>, from: int)
    requires
        0 <= from <= entries.len(),
        forall|i: int|
            0 <= i < entries.len() ==> comparable_with_itself((#[trigger] entries[i]).1),
    ensures
        entries_eq_spec(entries, entries, from) == Ok::<bool, ErrorView<H>>(true),
    decreases entries, entries.len() - from,
{
    if from < entries.len() {
        law_eq_reflexive(entries[from].1);
        lemma_entries_reflexive(entries, from + 1);
    }
}

/// Equality is reflexive: a value in which no string, function or host
/// reference is compared equals itself.
pub proof fn law_eq_reflexive<H>(v: ValueView<H>)
    requires
        comparable_with_itself(v),
    ensures
        eq_spec(v, v) == Ok::<bool, ErrorView<H>>(true),
    decreases v, 0nat,
{
    match v {
        ValueView::Tuple(entries) => lemma_entries_reflexive(entries, 0),
        ValueView::EnumVariant(e) => law_eq_reflexive(e.contents),
        ValueView::OptionSome(inner) => law_eq_reflexive(*inner),
        _ => {},
    }
}

proof fn lemma_entries_symmetric<H>(ls: Seq<EntryView<H>>, rs: Seq<EntryView<H>>, from: int)
    requires
        ls.len() == rs.len(),
        0 <= from <= ls.len(),
        entries_eq_spec(ls, rs, from) is Ok,
    ensures
        entries_eq_spec(rs, ls, from) == entries_eq_spec(ls, rs, from),
    decreases ls, ls.len() - from,
{
    if from < ls.len() {
        law_eq_symmetric(ls[from].1, rs[from].1);
        if eq_spec(ls[from].1, rs[from].1) == Ok::<bool, ErrorView<H>>(true) {
            lemma_entries_symmetric(ls, rs, from + 1);
        }
    }
}

/// Equality is symmetric: whenever comparing `a` with `b` gives a boolean,
/// comparing `b` with `a` gives the same boolean.
pub proof fn law_eq_symmetric<H>(a: ValueView<H>, b: ValueView<H>)
    requires
        eq_spec(a, b) is Ok,
    ensures
        eq_spec(b, a) == eq_spec(a, b),
    decreases a, 0nat,
{
    match (a, b) {
        (ValueView::Tuple(ls), ValueView::Tuple(rs)) => {
            if ls.len() == rs.len() {
                lemma_entries_symmetric(ls, rs, 0);
            }
        },
        (ValueView::EnumVariant(x), ValueView::EnumVariant(y)) => {
            if x.variant == y.variant && x.definition.id == y.definition.id {
                law_eq_symmetric(x.contents, y.contents);
            }
        },
        (ValueView::OptionSome(x), ValueView::OptionSome(y)) => {
            law_eq_symmetric(*x, *y);
        },
        _ => {},
    }
}

} // verus!
