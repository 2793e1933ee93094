//! The request sink: one slot, bound to one tag, written at most once.

use vstd::prelude::*;
use crate::datum::{Datum, DatumView};
use crate::frame::Frame;
use crate::tag::TagId;
use crate::tags::{Payload, PlainTag, Ref, TypeTag, Value};

verus! {

/// A sink bound to one tag. Its slot takes the first value deposited under
/// that tag and ignores every other deposit.
///
/// A provider deposits plain values. A frame is lent only by the frame
/// that it is the source of, and only to a sink that a chain made for its
/// frames: such a sink is linked.
pub struct Requisition<'p> {
    tag: TagId,
    slot: Option<Datum<'p>>,
    linked: bool,
}

/// A [`Requisition`] as contracts see it.
pub ghost struct RequisitionView {
    /// The tag that the sink is bound to.
    pub tag: TagId,
    /// What the slot holds.
    pub slot: Option<DatumView>,
    /// Whether a chain made the sink for its frames.
    pub linked: bool,
}

/// An offer as far as it holds no frame.
pub open spec fn plain_offer(offer: Option<DatumView>) -> Option<DatumView> {
    match offer {
        Some(datum) => if datum.plain() is Some {
            Some(datum)
        } else {
            None
        },
        None => None,
    }
}

impl RequisitionView {
    /// The empty sink bound to `tag`, as providers are asked with
    /// outside a chain.
    pub open spec fn empty(tag: TagId) -> RequisitionView {
        RequisitionView { tag, slot: None, linked: false }
    }

    /// The empty sink bound to `tag` that a chain makes for one of its
    /// frames.
    pub open spec fn linked(tag: TagId) -> RequisitionView {
        RequisitionView { tag, slot: None, linked: true }
    }

    /// Whether a deposit under `tag` would be stored.
    pub open spec fn accepts(self, tag: TagId) -> bool {
        self.tag == tag && self.slot is None
    }

    /// The sink after a deposit of `datum` under `tag`: stored where the
    /// tag is the sink's own and the slot is empty, ignored otherwise.
    pub open spec fn deposit(self, tag: TagId, datum: DatumView) -> RequisitionView {
        if self.accepts(tag) {
            RequisitionView { tag: self.tag, slot: Some(datum), linked: self.linked }
        } else {
            self
        }
    }

    /// What the sink takes of an offer: all of it if the sink is linked,
    /// and else only what holds no frame.
    pub open spec fn takes(self, offer: Option<DatumView>) -> Option<DatumView> {
        if self.linked {
            offer
        } else {
            plain_offer(offer)
        }
    }

    /// The sink after a provider that has `offer`, if anything, for the
    /// sink's own tag.
    pub open spec fn offer(self, offer: Option<DatumView>) -> RequisitionView {
        match self.takes(offer) {
            Some(datum) => self.deposit(self.tag, datum),
            None => self,
        }
    }
}

/// The first deposit under a sink's tag wins: a second deposit under the
/// same tag changes nothing, whatever the sink held before.
pub proof fn lemma_first_deposit_wins(
    sink: RequisitionView,
    tag: TagId,
    first: DatumView,
    second: DatumView,
)
    ensures
        sink.deposit(tag, first).deposit(tag, second) == sink.deposit(tag, first),
        sink.accepts(tag) ==> sink.deposit(tag, first).deposit(tag, second).slot == Some(first),
{
}

/// A deposit under any tag but the sink's own is ignored, whatever the
/// payload is: a payload type shared between two tags does not let one
/// answer for the other.
pub proof fn lemma_other_tag_is_ignored(sink: RequisitionView, tag: TagId, datum: DatumView)
    requires
        tag != sink.tag,
    ensures
        sink.deposit(tag, datum) == sink,
{
}

/// By-reference and by-value access to one payload type are different
/// tags, so neither answers a request for the other.
pub proof fn lemma_ref_and_value_differ<'p, T: Payload>(datum: DatumView)
    ensures
        Ref::<T>::identity() != Value::<T>::identity(),
        RequisitionView::empty(Value::<T>::identity()).deposit(Ref::<T>::identity(), datum).slot
            is None,
        RequisitionView::empty(Ref::<T>::identity()).deposit(Value::<T>::identity(), datum).slot
            is None,
{
}

/// An offer that holds no frame is taken by every sink alike.
pub proof fn lemma_plain_offer_is_taken(sink: RequisitionView, offer: Option<DatumView>)
    requires
        offer matches Some(datum) ==> datum.plain() is Some,
    ensures
        sink.takes(offer) == offer,
        sink.offer(offer) == (match offer {
            Some(datum) => sink.deposit(sink.tag, datum),
            None => sink,
        }),
{
}

impl<'p> View for Requisition<'p> {
    type V = RequisitionView;

    closed spec fn view(&self) -> RequisitionView {
        RequisitionView {
            tag: self.tag,
            slot: match self.slot {
                Some(datum) => Some(datum@),
                None => None,
            },
            linked: self.linked,
        }
    }
}

impl<'p> Requisition<'p> {
    /// A fresh, empty sink bound to `tag`.
    pub(crate) fn new(tag: TagId, linked: bool) -> (requisition: Requisition<'p>)
        ensures
            requisition@ == (RequisitionView { tag, slot: None, linked }),
    {
        Requisition { tag, slot: None, linked }
    }

    /// Ends the request and hands out what the slot holds.
    pub(crate) fn into_slot(self) -> (slot: Option<Datum<'p>>)
        ensures
            match slot {
                Some(datum) => self@.slot == Some(datum@),
                None => self@.slot is None,
            },
    {
        self.slot
    }

    /// Whether a deposit under `tag` would be stored.
    pub(crate) fn accepts(&self, tag: &TagId) -> (accepts: bool)
        ensures
            accepts == self@.accepts(*tag),
    {
        self.slot.is_none() && self.tag.same(tag)
    }

    /// The tag that is wanted, while nothing has been stored for it.
    pub(crate) fn wanted(&self) -> (tag: Option<&TagId>)
        ensures
            match tag {
                Some(tag) => *tag == self@.tag && self@.slot is None,
                None => self@.slot is Some,
            },
    {
        if self.slot.is_none() {
            Some(&self.tag)
        } else {
            None
        }
    }

    /// Whether a chain made this sink for its frames.
    pub(crate) fn is_linked(&self) -> (linked: bool)
        ensures
            linked == self@.linked,
    {
        self.linked
    }

    /// Stores `datum` in the empty slot.
    pub(crate) fn fill(&mut self, datum: Datum<'p>)
        requires
            old(self)@.slot is None,
        ensures
            final(self)@ == old(self)@.deposit(old(self)@.tag, datum@),
    {
        self.slot = Some(datum);
    }

    /// Lends `frame` to the empty slot of a linked sink.
    pub(crate) fn lend(&mut self, frame: &'p Frame)
        requires
            old(self)@.slot is None,
            old(self)@.linked,
        ensures
            final(self)@ == old(self)@.deposit(old(self)@.tag, DatumView::Frame(*frame)),
    {
        self.slot = Some(Datum::Frame(frame));
    }

    /// Whether this sink is bound to the tag `I`.
    pub fn is<I: TypeTag<'p>>(&self) -> (bound: bool)
        ensures
            bound == (self@.tag == I::identity()),
    {
        self.tag.same(&I::id())
    }

    /// Deposits `value` under the tag `I`. The value is stored if the sink
    /// is bound to `I` and still empty; otherwise nothing changes.
    pub fn provide<I: PlainTag<'p>>(&mut self, value: I::Type) -> (sink: &mut Self)
        ensures
            sink@ == old(self)@.deposit(I::identity(), I::encoded(value)),
            I::encoded(value).plain() is Some,
            *final(self) == *final(sink),
    {
        proof {
            I::lemma_encoded_is_plain(value);
        }
        if self.accepts(&I::id()) {
            self.fill(I::encode(value));
        }
        self
    }

    /// Deposits a reference to `value` under the tag [`Ref<T>`].
    pub fn provide_ref<T: Payload>(&mut self, value: &'p T) -> (sink: &mut Self)
        ensures
            sink@ == old(self)@.deposit(Ref::<T>::identity(), Ref::<T>::encoded(value)),
            *final(self) == *final(sink),
    {
        self.provide::<Ref<T>>(value)
    }

    /// Deposits under the tag `I` the value that `make` returns. `make` is
    /// called only if its value will be stored.
    pub fn provide_with<I: PlainTag<'p>, F: FnOnce() -> I::Type>(&mut self, make: F) -> (sink:
        &mut Self)
        requires
            old(self)@.accepts(I::identity()) ==> make.requires(()),
        ensures
            !old(self)@.accepts(I::identity()) ==> sink@ == old(self)@,
            old(self)@.accepts(I::identity()) ==> exists|value: I::Type|
                #[trigger] make.ensures((), value) && sink@ == old(self)@.deposit(
                    I::identity(),
                    I::encoded(value),
                ) && I::encoded(value).plain() is Some,
            *final(self) == *final(sink),
    {
        if self.accepts(&I::id()) {
            let value = make();
            proof {
                I::lemma_encoded_is_plain(value);
                let ghost before = old(self)@;
                assert(make.ensures((), value) && before.deposit(I::identity(), I::encoded(value))
                    == before.deposit(I::identity(), I::encoded(value)));
            }
            self.fill(I::encode(value));
        }
        self
    }

    /// Deposits under the tag [`Value<T>`] the value that `make` returns.
    /// `make` is called only if its value will be stored.
    pub fn provide_value<T: Payload, F: FnOnce() -> T>(&mut self, make: F) -> (sink: &mut Self)
        requires
            old(self)@.accepts(Value::<T>::identity()) ==> make.requires(()),
        ensures
            !old(self)@.accepts(Value::<T>::identity()) ==> sink@ == old(self)@,
            old(self)@.accepts(Value::<T>::identity()) ==> exists|value: T|
                #[trigger] make.ensures((), value) && sink@ == old(self)@.deposit(
                    Value::<T>::identity(),
                    Value::<T>::encoded(value),
                ),
            *final(self) == *final(sink),
    {
        self.provide_with::<Value<T>, F>(make)
    }
}

} // verus!
