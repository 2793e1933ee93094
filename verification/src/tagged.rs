//! A value that carries the identity of the tag it was given.

use vstd::prelude::*;
use crate::datum::{Datum, DatumView};
use crate::tag::TagId;
use crate::tags::TypeTag;

verus! {

/// A value together with the tag it was tagged with. The value's type is
/// no longer visible; the tag's identity says how to get it back.
pub struct Tagged<'p> {
    pub tag: TagId,
    pub datum: Datum<'p>,
}

impl<'p> View for Tagged<'p> {
    type V = (TagId, DatumView);

    open spec fn view(&self) -> (TagId, DatumView) {
        (self.tag, self.datum@)
    }
}

impl<'p> Tagged<'p> {
    /// Tags `value` with the tag `I`.
    pub fn tag<I: TypeTag<'p>>(value: I::Type) -> (tagged: Tagged<'p>)
        ensures
            tagged@ == (I::identity(), I::encoded(value)),
    {
        Tagged { tag: I::id(), datum: I::encode(value) }
    }

    /// Whether the value is tagged with `I`.
    pub fn is<I: TypeTag<'p>>(&self) -> (tagged: bool)
        ensures
            tagged == (self@.0 == I::identity()),
    {
        self.tag.same(&I::id())
    }

    /// A copy of the value, if it is tagged with `I` and travels in the
    /// shape of `I`; `None` otherwise.
    pub fn downcast_ref<I: TypeTag<'p>>(&self) -> (value: Option<I::Type>)
        ensures
            value is Some <==> self@.0 == I::identity() && I::carries(self@.1),
            value matches Some(value) ==> I::encoded(value) == self@.1,
    {
        if self.is::<I>() {
            I::decode(self.datum.duplicate())
        } else {
            None
        }
    }

    /// The value, if it is tagged with `I` and travels in the shape of
    /// `I`; otherwise the tagged value is handed back as it came.
    pub fn downcast<I: TypeTag<'p>>(self) -> (value: Result<I::Type, Tagged<'p>>)
        ensures
            value is Ok <==> self@.0 == I::identity() && I::carries(self@.1),
            match value {
                Ok(value) => I::encoded(value) == self@.1,
                Err(tagged) => tagged == self,
            },
    {
        if self.is::<I>() {
            match I::decode(self.datum.duplicate()) {
                Some(value) => Ok(value),
                None => Err(self),
            }
        } else {
            Err(self)
        }
    }

    /// Copies a tagged value.
    pub fn duplicate(&self) -> (copy: Tagged<'p>)
        ensures
            copy@ == self@,
    {
        Tagged { tag: self.tag.duplicate(), datum: self.datum.duplicate() }
    }
}

} // verus!
