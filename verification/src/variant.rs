//! Inhabitants of enums.

use crate::tuple::name_view;
use crate::value::{EnumType, EnumVariant, EnumVariantView, Value};
use std::rc::Rc;
use vstd::prelude::*;

verus! {

impl<H> EnumVariantView<H> {
    /// Whether the variant index names a variant of the definition.
    pub open spec fn wf(self) -> bool {
        self.variant < self.definition.variants.len()
    }
}

impl<H> EnumVariant<H> {
    /// The value that the variant carries.
    pub fn contents(&self) -> (contents: &Value<H>)
        ensures
            contents@ == self@.contents,
    {
        &self.contents
    }

    /// The enum type that the variant belongs to.
    pub fn definition(&self) -> (definition: &Rc<EnumType<H>>)
        ensures
            definition@ == self@.definition,
    {
        &self.definition
    }

    /// The position of the variant in its enum type.
    pub fn variant(&self) -> (variant: usize)
        ensures
            variant == self@.variant,
    {
        self.variant
    }

    /// The name that the enum type gives the variant, and the value that the
    /// variant carries.
    ///
    /// The variant must be one that its enum type has.
    pub fn unwrap(self) -> (entry: (Option<Rc<str>>, Value<H>))
        requires
            self@.wf(),
        ensures
            name_view(entry.0) == self@.definition.variants[self@.variant as int].0,
            entry.1@ == self@.contents,
    {
        let name = match &self.definition.variants.index(self.variant).0 {
            Some(n) => Some(n.clone()),
            None => None,
        };
        (name, self.contents)
    }
}

} // verus!
