//! Tuples: ordered, shared, immutable sequences of optionally named values.

use crate::text::same_text;
use crate::value::{value_view, Value, ValueView};
use std::rc::Rc;
use vstd::prelude::*;
use vstd::std_specs::convert::FromSpecImpl;

verus! {

/// An ordered, shared, immutable sequence of optionally named values. Names
/// need not be unique.
#[derive(Debug)]
pub struct Tuple<H>(Rc<Vec<(Option<Rc<str>>, Value<H>)>>);

/// A tuple entry as mathematics: its name, if it has one, and its value.
pub type EntryView<H> = (Option<Seq<char>>, ValueView<H>);

/// The characters of an entry's name.
pub open spec fn name_view(name: Option<Rc<str>>) -> Option<Seq<char>> {
    match name {
        Some(s) => Some((*s)@),
        None => None,
    }
}

/// The mathematical content of a run of entries, entry by entry.
pub open spec fn entries_view<H>(entries: Seq<(Option<Rc<str>>, Value<H>)>) -> Seq<EntryView<H>>
    decreases entries,
{
    Seq::new(
        entries.len(),
        |i: int|
            if 0 <= i < entries.len() {
                (name_view(entries[i].0), value_view(entries[i].1))
            } else {
                arbitrary()
            },
    )
}

pub closed spec fn tuple_view<H>(t: Tuple<H>) -> Seq<EntryView<H>>
    decreases t,
{
    entries_view(t.0@)
}

impl<H> View for Tuple<H> {
    type V = Seq<EntryView<H>>;

    open spec fn view(&self) -> Seq<EntryView<H>> {
        tuple_view(*self)
    }
}

/// Whether `index` is the first entry of `entries` that is named `name`.
pub open spec fn is_first_named<H>(entries: Seq<EntryView<H>>, name: Seq<char>, index: int) -> bool {
    &&& 0 <= index < entries.len()
    &&& entries[index].0 == Some(name)
    &&& forall|j: int| 0 <= j < index ==> (#[trigger] entries[j]).0 != Some(name)
}

/// Whether some entry of `entries` is named `name`.
pub open spec fn has_named<H>(entries: Seq<EntryView<H>>, name: Seq<char>) -> bool {
    exists|i: int| 0 <= i < entries.len() && (#[trigger] entries[i]).0 == Some(name)
}

impl<H> Tuple<H> {
    /// The number of entries.
    pub fn len(&self) -> (n: usize)
        ensures
            n == self@.len(),
    {
        self.0.len()
    }

    /// Whether the tuple has no entry.
    pub fn is_empty(&self) -> (empty: bool)
        ensures
            empty == (self@.len() == 0),
    {
        self.len() == 0
    }

    /// The entry at `index`, which must lie within the tuple: its name and
    /// its value.
    pub fn index(&self, index: usize) -> (entry: &(Option<Rc<str>>, Value<H>))
        requires
            index < self@.len(),
        ensures
            (name_view(entry.0), entry.1@) == self@[index as int],
    {
        &self.0[index]
    }

    /// The value at `index`, if the tuple is that long.
    pub fn value(&self, index: usize) -> (found: Option<&Value<H>>)
        ensures
            match found {
                Some(v) => index < self@.len() && v@ == self@[index as int].1,
                None => index >= self@.len(),
            },
    {
        if index < self.0.len() {
            Some(&self.0[index].1)
        } else {
            None
        }
    }

    /// The value of the first entry named `name`, if there is one.
    pub fn find_value(&self, name: &str) -> (found: Option<&Value<H>>)
        ensures
            match found {
                Some(v) => exists|i: int| is_first_named(self@, name@, i) && v@ == self@[i].1,
                None => !has_named(self@, name@),
            },
    {
        let mut i: usize = 0;
        while i < self.0.len()
            invariant
                i <= self@.len(),
                self@.len() == self.0@.len(),
                forall|j: int| 0 <= j < i ==> (#[trigger] self@[j]).0 != Some(name@),
            decreases self.0.len() - i,
        {
            let entry = &self.0[i];
            let matches = match &entry.0 {
                Some(n) => same_text(&**n, name),
                None => false,
            };
            if matches {
                proof {
                    assert(is_first_named(self@, name@, i as int));
                }
                return Some(&entry.1);
            }
            i += 1;
        }
        None
    }

    /// The values of the entries, in order.
    pub fn values(&self) -> (values: Vec<&Value<H>>)
        ensures
            values@.len() == self@.len(),
            forall|i: int| 0 <= i < values@.len() ==> (#[trigger] values@[i])@ == self@[i].1,
    {
        let mut values: Vec<&Value<H>> = Vec::new();
        let mut i: usize = 0;
        while i < self.0.len()
            invariant
                i <= self@.len(),
                self@.len() == self.0@.len(),
                values@.len() == i,
                forall|j: int| 0 <= j < i ==> (#[trigger] values@[j])@ == self@[j].1,
            decreases self.0.len() - i,
        {
            values.push(&self.0[i].1);
            i += 1;
        }
        values
    }
}

impl<H> AsRef<[(Option<Rc<str>>, Value<H>)]> for Tuple<H> {
    /// The entries, in order.
    fn as_ref(&self) -> (entries: &[(Option<Rc<str>>, Value<H>)])
        ensures
            entries_view(entries@) == self@,
    {
        self.0.as_slice()
    }
}

impl<H> Clone for Tuple<H> {
    fn clone(&self) -> (res: Self)
        ensures
            res == *self,
    {
        Tuple(self.0.clone())
    }
}

impl<H> From<Vec<(Option<Rc<str>>, Value<H>)>> for Tuple<H> {
    /// The tuple of `entries`, in their order.
    fn from(entries: Vec<(Option<Rc<str>>, Value<H>)>) -> (tuple: Self)
        ensures
            tuple@ == entries_view(entries@),
    {
        Tuple(Rc::new(entries))
    }
}

impl<H> FromSpecImpl<Vec<(Option<Rc<str>>, Value<H>)>> for Tuple<H> {
    open spec fn obeys_from_spec() -> bool {
        true
    }

    closed spec fn from_spec(entries: Vec<(Option<Rc<str>>, Value<H>)>) -> Self {
        Tuple(Rc::new(entries))
    }
}

impl<H> From<(Rc<str>, Value<H>)> for Tuple<H> {
    /// The tuple of one entry, named.
    fn from(entry: (Rc<str>, Value<H>)) -> (tuple: Self)
        ensures
            tuple@ == seq![(Some((*entry.0)@), entry.1@)],
    {
        let mut entries: Vec<(Option<Rc<str>>, Value<H>)> = Vec::new();
        entries.push((Some(entry.0), entry.1));
        Tuple(Rc::new(entries))
    }
}

impl<H> FromSpecImpl<(Rc<str>, Value<H>)> for Tuple<H> {
    open spec fn obeys_from_spec() -> bool {
        false
    }

    closed spec fn from_spec(entry: (Rc<str>, Value<H>)) -> Self {
        choose|tuple: Tuple<H>| #[trigger] tuple_view(tuple) == seq![(Some((*entry.0)@), entry.1@)]
    }
}

} // verus!
