//! Tuple concatenation: an associative append with `Unit` as its identity.

use crate::tuple::{entries_view, EntryView, Tuple};
use crate::value::{Storage, Value, ValueView};
use std::rc::Rc;
use vstd::prelude::*;

verus! {

/// The entries a value contributes to a concatenation: those of a tuple, or
/// the value itself as a single unnamed entry.
pub open spec fn entries_of<H>(v: ValueView<H>) -> Seq<EntryView<H>> {
    match v {
        ValueView::Tuple(entries) => entries,
        _ => seq![(None, v)],
    }
}

/// The concatenation of `l` and `r`: `Unit` on either side leaves the other
/// side as it is; otherwise the result is the tuple of the entries of `l`
/// followed by those of `r`.
pub open spec fn concat_spec<H>(l: ValueView<H>, r: ValueView<H>) -> ValueView<H> {
    if r is Unit {
        l
    } else if l is Unit {
        r
    } else {
        ValueView::Tuple(entries_of(l) + entries_of(r))
    }
}

/// Appends to `entries` what `storage` contributes to a concatenation.
fn append_entries<H: Copy>(entries: &mut Vec<(Option<Rc<str>>, Value<H>)>, storage: Storage<H>)
    ensures
        entries_view(final(entries)@) == entries_view(old(entries)@) + entries_of(
            (Value { storage })@,
        ),
{
    match storage {
        Storage::Tuple(tuple) => {
            let mut i: usize = 0;
            while i < tuple.len()
                invariant
                    i <= tuple@.len(),
                    entries_view(entries@) == entries_view(old(entries)@) + tuple@.subrange(
                        0,
                        i as int,
                    ),
                decreases tuple@.len() - i,
            {
                let entry = tuple.index(i);
                let name = match &entry.0 {
                    Some(n) => Some(n.clone()),
                    None => None,
                };
                let ghost before = entries@;
                entries.push((name, entry.1.clone()));
                proof {
                    assert(entries_view(entries@) =~= entries_view(before).push(tuple@[i as int]));
                }
                i += 1;
            }
        },
        single => {
            entries.push((None, Value { storage: single }));
        },
    }
}

impl<H: Copy> Value<H> {
    /// Concatenates two values into a fresh tuple; `Unit` is the identity.
    /// A value that is not a tuple joins as a single entry without a name.
    pub fn concat(self, r: Self) -> (result: Self)
        ensures
            result@ == concat_spec(self@, r@),
            self@ is Unit ==> result@ == r@,
            r@ is Unit ==> result@ == self@,
    {
        match (self.storage, r.storage) {
            (l, Storage::Unit) => Value { storage: l },
            (Storage::Unit, r) => Value { storage: r },
            (l, r) => {
                let mut entries: Vec<(Option<Rc<str>>, Value<H>)> = Vec::new();
                append_entries(&mut entries, l);
                append_entries(&mut entries, r);
                Value { storage: Storage::Tuple(Tuple::from(entries)) }
            },
        }
    }
}

/// `Unit` is the identity of concatenation on both sides.
pub proof fn law_concat_identity<H>(v: ValueView<H>)
    ensures
        concat_spec(ValueView::Unit, v) == v,
        concat_spec(v, ValueView::Unit) == v,
{
}

/// Concatenation is associative: grouping to the left or to the right gives
/// the same value, and so the same length and the same entries in the same
/// positions.
pub proof fn law_concat_associative<H>(a: ValueView<H>, b: ValueView<H>, c: ValueView<H>)
    ensures
        concat_spec(concat_spec(a, b), c) == concat_spec(a, concat_spec(b, c)),
{
    if !(a is Unit) && !(b is Unit) && !(c is Unit) {
        assert((entries_of(a) + entries_of(b)) + entries_of(c) =~= entries_of(a) + (entries_of(b)
            + entries_of(c)));
    }
}

} // verus!
