//! What a frame can carry besides a message: any provider.
//!
//! A frame owns the provider attached to it, and is itself handed out by
//! reference under the error-source tag. So an attached provider is asked
//! tag by tag, each time against a fresh requisition that is not linked to
//! a chain, as every provider is when it is asked on its own. What it
//! deposits there holds no frame, and all of it is handed on.

use vstd::prelude::*;
use crate::datum::{Plain, PlainView};
use crate::provider::Provider;
use crate::requisition::Requisition;
use crate::tag::TagId;

verus! {

/// Typed data attached to a frame, asked tag by tag.
pub(crate) trait Attachment: Send + Sync {
    /// What the attachment has for `tag`.
    spec fn attached(&self, tag: TagId) -> Option<PlainView>;

    /// Hands out what the attachment has for `tag`.
    fn answer<'p>(&'p self, tag: &TagId) -> (plain: Option<Plain<'p>>)
        ensures
            match plain {
                Some(plain) => self.attached(*tag) == Some(plain@),
                None => self.attached(*tag) is None,
            },
    ;
}

/// What a provider deposits for `tag` in a sink that is not linked to a
/// chain: what it has for the tag, as far as it holds no frame.
pub open spec fn attached_by<P: Provider>(provider: P, tag: TagId) -> Option<PlainView> {
    match provider.provided(tag) {
        Some(datum) => datum.plain(),
        None => None,
    }
}

/// A provider as an attachment: asked for a tag, it runs the provider
/// against a fresh requisition bound to that tag and hands out what was
/// deposited.
pub(crate) struct Attached<P>(pub(crate) P);

impl<P: Provider + Send + Sync> Attachment for Attached<P> {
    open spec fn attached(&self, tag: TagId) -> Option<PlainView> {
        attached_by(self.0, tag)
    }

    fn answer<'p>(&'p self, tag: &TagId) -> (plain: Option<Plain<'p>>) {
        let mut requisition = Requisition::new(tag.duplicate(), false);
        self.0.provide(&mut requisition);
        match requisition.into_slot() {
            Some(datum) => datum.into_plain(),
            None => None,
        }
    }
}

/// An attachment of any type, as a frame holds it.
pub struct Enclosure {
    attachment: Box<dyn Attachment>,
}

impl Enclosure {
    /// What the enclosed attachment has for `tag`.
    pub closed spec fn attached(&self, tag: TagId) -> Option<PlainView> {
        self.attachment.attached(tag)
    }

    /// Whether this encloses `provider`: it answers every tag as
    /// `provider` does when it is asked on its own.
    pub open spec fn holds<P: Provider + Send + Sync + 'static>(&self, provider: P) -> bool {
        forall|tag: TagId| #[trigger] self.attached(tag) == attached_by(provider, tag)
    }

    /// Encloses `provider`. It is kept as it is and asked anew at every
    /// request.
    pub fn of<P: Provider + Send + Sync + 'static>(provider: P) -> (enclosure: Enclosure)
        ensures
            enclosure.holds(provider),
    {
        let enclosure = Enclosure { attachment: Box::new(Attached(provider)) };
        assert forall|tag: TagId| #[trigger]
            enclosure.attached(tag) == attached_by(provider, tag) by {
            assert(enclosure.attachment.attached(tag) == Attached(provider).attached(tag));
        }
        enclosure
    }

    /// Hands out what the enclosed attachment has for `tag`.
    pub fn answer<'p>(&'p self, tag: &TagId) -> (plain: Option<Plain<'p>>)
        ensures
            match plain {
                Some(plain) => self.attached(*tag) == Some(plain@),
                None => self.attached(*tag) is None,
            },
    {
        self.attachment.answer(tag)
    }
}

} // verus!
