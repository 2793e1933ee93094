//! Tag identity: a comparable name for "a payload requested in a
//! particular way".
//!
//! Two tags are the same exactly when their identities are equal. The
//! payload type alone never decides: by-reference and by-value access to
//! one type differ, a semantic tag differs from every type-based tag, and a
//! tag wrapped by a combinator differs from the tag inside.

use vstd::prelude::*;

verus! {

/// The payload types that a requisition can carry.
#[derive(Clone, Copy, PartialEq, Eq, Structural, Debug)]
pub enum Kind {
    Flag,
    Unsigned,
    Signed,
    Text,
    Location,
}

/// The identity of one tag.
#[derive(Debug)]
pub enum TagId {
    /// Shared-reference access to a payload of the given kind.
    Ref(Kind),
    /// Owned access to a payload of the given kind.
    Value(Kind),
    /// The inner tag's payload, wrapped in an `Option`.
    OptionOf(Box<TagId>),
    /// The first tag's payload or the second's, wrapped in a `Result`.
    ResultOf(Box<TagId>, Box<TagId>),
    /// The rendered message of an error.
    ErrorMessage,
    /// The place where an error was attached.
    ErrorLocation,
    /// The direct cause of an error.
    ErrorSource,
    /// A tag private to one consumer: owned access to a payload of the
    /// given kind, under the consumer's own number.
    Custom(u64, Kind),
}

impl TagId {
    /// How many combinators are nested in this identity.
    pub open spec fn depth(self) -> nat
        decreases self,
    {
        match self {
            TagId::OptionOf(inner) => 1 + inner.depth(),
            TagId::ResultOf(ok, err) => 1 + ok.depth() + err.depth(),
            _ => 0,
        }
    }

    /// Tells whether two identities are the same.
    pub fn same(&self, other: &TagId) -> (b: bool)
        ensures
            b == (*self == *other),
        decreases *self,
    {
        match (self, other) {
            (TagId::Ref(a), TagId::Ref(b)) => *a == *b,
            (TagId::Value(a), TagId::Value(b)) => *a == *b,
            (TagId::OptionOf(a), TagId::OptionOf(b)) => a.same(b),
            (TagId::ResultOf(a, c), TagId::ResultOf(b, d)) => a.same(b) && c.same(d),
            (TagId::ErrorMessage, TagId::ErrorMessage) => true,
            (TagId::ErrorLocation, TagId::ErrorLocation) => true,
            (TagId::ErrorSource, TagId::ErrorSource) => true,
            (TagId::Custom(a, c), TagId::Custom(b, d)) => *a == *b && *c == *d,
            _ => false,
        }
    }

    /// Copies an identity.
    pub fn duplicate(&self) -> (copy: TagId)
        ensures
            copy == *self,
        decreases *self,
    {
        match self {
            TagId::Ref(kind) => TagId::Ref(*kind),
            TagId::Value(kind) => TagId::Value(*kind),
            TagId::OptionOf(inner) => TagId::OptionOf(Box::new(inner.duplicate())),
            TagId::ResultOf(ok, err) => TagId::ResultOf(
                Box::new(ok.duplicate()),
                Box::new(err.duplicate()),
            ),
            TagId::ErrorMessage => TagId::ErrorMessage,
            TagId::ErrorLocation => TagId::ErrorLocation,
            TagId::ErrorSource => TagId::ErrorSource,
            TagId::Custom(number, kind) => TagId::Custom(*number, *kind),
        }
    }
}

impl Clone for TagId {
    fn clone(&self) -> (copy: TagId)
        ensures
            copy == *self,
    {
        self.duplicate()
    }
}

impl PartialEq for TagId {
    fn eq(&self, other: &TagId) -> (b: bool) {
        self.same(other)
    }
}

impl vstd::std_specs::cmp::PartialEqSpecImpl for TagId {
    open spec fn obeys_eq_spec() -> bool {
        true
    }

    open spec fn eq_spec(&self, other: &TagId) -> bool {
        *self == *other
    }
}

/// By-reference and by-value access to one payload type are different
/// tags, and neither is a semantic tag.
pub proof fn lemma_access_mode_is_part_of_identity(kind: Kind)
    ensures
        TagId::Ref(kind) != TagId::Value(kind),
        TagId::Ref(kind) != TagId::ErrorMessage,
        TagId::Ref(kind) != TagId::ErrorLocation,
        TagId::Ref(kind) != TagId::ErrorSource,
        TagId::Value(kind) != TagId::ErrorMessage,
        TagId::Value(kind) != TagId::ErrorLocation,
        TagId::Value(kind) != TagId::ErrorSource,
{
}

/// A tag wrapped by a combinator is never the tag inside, however deep the
/// nesting.
pub proof fn lemma_combinator_changes_identity(inner: TagId, other: TagId)
    ensures
        TagId::OptionOf(Box::new(inner)) != inner,
        TagId::ResultOf(Box::new(inner), Box::new(other)) != inner,
        TagId::ResultOf(Box::new(other), Box::new(inner)) != inner,
{
    assert(TagId::OptionOf(Box::new(inner)).depth() == 1 + inner.depth());
    assert(TagId::ResultOf(Box::new(inner), Box::new(other)).depth() == 1 + inner.depth()
        + other.depth());
    assert(TagId::ResultOf(Box::new(other), Box::new(inner)).depth() == 1 + other.depth()
        + inner.depth());
}

} // verus!
